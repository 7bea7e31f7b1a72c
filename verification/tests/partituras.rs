use nucleo::erro::Erro;
use nucleo::modelo::{CaboSalvo, TipoCabo, TipoNo, MAX_AGENTES_POR_WORKSPACE};
use nucleo::partituras::{cabos_salvos, checar_montagem, contar_agentes, nome_livre};

#[test]
fn os_cabos_viram_posicoes_e_o_perdido_fica_de_fora() {
    let ids = vec!["n1".to_string(), "n2".to_string(), "n3".to_string()];
    let cabos = vec![
        ("n1".to_string(), "n2".to_string(), TipoCabo::FalaCom),
        ("n3".to_string(), "fantasma".to_string(), TipoCabo::LeNota),
        ("n3".to_string(), "n1".to_string(), TipoCabo::EscreveNota),
    ];
    assert_eq!(
        cabos_salvos(&ids, &cabos),
        vec![
            CaboSalvo { de: 0, para: 1, tipo: TipoCabo::FalaCom },
            CaboSalvo { de: 2, para: 0, tipo: TipoCabo::EscreveNota },
        ]
    );
}

#[test]
fn reabrir_no_mesmo_workspace_nao_repete_nome() {
    let usados = vec!["redator".to_string(), "redator 2".to_string(), "chefe".to_string()];
    assert_eq!(nome_livre("  Redator ", &usados), "Redator 3");
    assert_eq!(nome_livre("Revisor", &usados), "Revisor");
    assert_eq!(nome_livre("CHEFE", &usados), "CHEFE 2");
}

#[test]
fn mil_repetidos_caem_num_sufixo() {
    let mut usados = vec!["x".to_string()];
    for n in 2..1000 {
        usados.push(format!("x {n}"));
    }
    let nome = nome_livre("x", &usados);
    assert!(nome.starts_with("x "));
    assert_eq!(nome.chars().count(), 6);
}

#[test]
fn o_teto_de_agentes_vale_ao_reabrir_um_time() {
    let cheio: Vec<TipoNo> = vec![TipoNo::Agente; MAX_AGENTES_POR_WORKSPACE - 1];
    assert_eq!(contar_agentes(&cheio), MAX_AGENTES_POR_WORKSPACE - 1);
    assert!(checar_montagem(&cheio, &vec![TipoNo::Agente, TipoNo::Nota]).is_ok());
    match checar_montagem(&cheio, &vec![TipoNo::Agente, TipoNo::Agente]) {
        Err(Erro::Invalido(m)) => assert_eq!(
            m,
            "abrir este time passaria de 20 agentes no workspace. Apague alguém antes, ou abra em outro workspace."
        ),
        outro => panic!("veio {outro:?}"),
    }
    match checar_montagem(&cheio, &vec![]) {
        Err(Erro::Invalido(m)) => assert_eq!(m, "este time salvo está vazio"),
        outro => panic!("veio {outro:?}"),
    }
}
