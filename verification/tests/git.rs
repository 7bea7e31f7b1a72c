use nucleo::ensaios::{
    checar_publicavel, descartar_tira_o_foco, escolhas_no_git, previa_da_publicacao, ramo_novo,
    repo_ou_erro,
};
use nucleo::erro::Erro;
use nucleo::git::{
    falha_do_git, ler_conflitos, ler_name_status, ler_pendentes, opcao_do_lado, plano_de_resolucao, Lado,
};
use nucleo::modelo::{Ensaio, EstadoEnsaio, LadoDoConflito, TipoMudanca};

#[test]
fn o_name_status_vira_letra_e_caminho() {
    let bruto = "M\tcontrato.txt\nA\tparecer.md\nR100\tvelho.txt\tnovo.txt\nlinha sem tab\n";
    assert_eq!(
        ler_name_status(bruto),
        vec![
            ("M".to_string(), "contrato.txt".to_string()),
            ("A".to_string(), "parecer.md".to_string()),
            ("R100".to_string(), "velho.txt".to_string()),
        ]
    );
    assert!(ler_name_status("").is_empty());
}

#[test]
fn os_conflitos_vem_depois_do_oid_e_antes_da_explicacao() {
    let saida = "4b825dc642cb6eb9a060e54bf8d69288fbee4904\ncontrato.txt\n  outro.txt \n\nAuto-merging contrato.txt\nCONFLICT (content)\n";
    assert_eq!(ler_conflitos(saida, false), vec!["contrato.txt".to_string(), "outro.txt".to_string()]);
    assert!(ler_conflitos(saida, true).is_empty(), "sucesso quer dizer que nada conflita");
    assert!(ler_conflitos("", false).is_empty());
}

#[test]
fn conflito_sem_escolha_nao_publica_nada() {
    let pendentes = ler_pendentes("contrato.txt\n\n  anexo.txt\n");
    assert_eq!(pendentes, vec!["contrato.txt".to_string(), "anexo.txt".to_string()]);
    let escolhas = vec![("contrato.txt".to_string(), Lado::Rascunho)];
    match plano_de_resolucao(&pendentes, &escolhas) {
        Err(Erro::Invalido(m)) => assert_eq!(
            m,
            "\"anexo.txt\" mudou dos dois lados e ninguém escolheu qual fica. Nada foi publicado."
        ),
        outro => panic!("veio {outro:?}"),
    }
}

#[test]
fn escolher_um_lado_resolve_o_conflito() {
    let pendentes = vec!["contrato.txt".to_string()];
    let escolhas = escolhas_no_git(&vec![
        ("contrato.txt".to_string(), LadoDoConflito::Original),
        ("contrato.txt".to_string(), LadoDoConflito::Rascunho),
    ]);
    let plano = plano_de_resolucao(&pendentes, &escolhas).unwrap();
    assert_eq!(plano, vec![("contrato.txt".to_string(), Lado::Original)], "vale a primeira escolha");
    assert_eq!(opcao_do_lado(Lado::Original), "--ours");
    assert_eq!(opcao_do_lado(Lado::Rascunho), "--theirs");
}

#[test]
fn a_falha_do_git_diz_o_subcomando() {
    assert_eq!(falha_do_git("merge", "  fatal: not possible\n").mensagem(), "git merge falhou: fatal: not possible");
}

fn ensaio(estado: EstadoEnsaio) -> Ensaio {
    Ensaio {
        id: "e1".into(),
        workspace_id: "w1".into(),
        nome: "Rascunho 2".into(),
        branch: "rascunho/abcd1234".into(),
        caminho_worktree: "/tmp/x".into(),
        base_commit: None,
        estado,
        criado_em: 0,
        alterado_em: 0,
    }
}

#[test]
fn so_rascunho_aberto_se_publica() {
    assert!(checar_publicavel(&ensaio(EstadoEnsaio::Aberto)).is_ok());
    match checar_publicavel(&ensaio(EstadoEnsaio::Publicado)) {
        Err(Erro::Invalido(m)) => assert_eq!(m, "o rascunho \"Rascunho 2\" já foi publicado"),
        outro => panic!("veio {outro:?}"),
    }
}

#[test]
fn sem_historico_o_app_continua_servindo_e_diz_por_que() {
    match repo_ou_erro(&None) {
        Err(e) => assert!(e.mensagem().contains("Git não está instalado"), "{e:?}"),
        Ok(r) => panic!("inventou {r}"),
    }
    assert_eq!(repo_ou_erro(&Some("/r".into())).unwrap(), "/r");
}

#[test]
fn o_ramo_de_um_rascunho_leva_um_id_e_nao_o_nome() {
    let (ramo, curto) = ramo_novo();
    assert_eq!(curto.chars().count(), 8);
    assert_eq!(ramo, format!("rascunho/{curto}"));
    assert_ne!(ramo_novo().0, ramo);
}

#[test]
fn a_previa_diz_o_que_muda() {
    let p = previa_da_publicacao(
        "e1",
        &vec![("A".into(), "parecer.md".into()), ("M".into(), "contrato.txt".into())],
        vec!["x.txt".into()],
    );
    assert_eq!(p.ensaio_id, "e1");
    assert_eq!(p.alteracoes.len(), 2);
    assert_eq!(p.alteracoes[0].caminho, "parecer.md");
    assert_eq!(p.alteracoes[0].como, TipoMudanca::Criado);
    assert_eq!(p.alteracoes[1].como, TipoMudanca::Alterado);
    assert_eq!(p.conflitos, vec!["x.txt".to_string()]);
}

#[test]
fn descartar_o_rascunho_em_foco_tira_o_foco() {
    assert!(descartar_tira_o_foco(&Some("e1".into()), "e1"));
    assert!(!descartar_tira_o_foco(&Some("e2".into()), "e1"));
    assert!(!descartar_tira_o_foco(&None, "e1"));
}
