use nucleo::barramento::{aceita_regra, pede_licenca};
use nucleo::ferramentas::{nome_completo, FERRAMENTAS_QUE_GRAVAM};
use nucleo::modelo::{Autonomia, Papel, ServidorMcp};
use nucleo::papeis;

fn papel(autonomia: Autonomia, ferramentas: Vec<String>) -> Papel {
    Papel {
        id: "x".into(),
        nome: "N".into(),
        prompt: "p".into(),
        ferramentas,
        autonomia,
        modelo: None,
        embutido: false,
        criado_em: 0,
        mcp: vec![],
    }
}

/// Um papel embutido, montado a partir da biblioteca.
fn embutido(nome: &str) -> Papel {
    let (n, prompt, ferramentas, autonomia) = papeis::embutidos()
        .into_iter()
        .find(|e| e.0 == nome)
        .expect("papel embutido");
    Papel {
        id: format!("papel-{n}"),
        nome: n.to_string(),
        prompt: prompt.to_string(),
        ferramentas: ferramentas.into_iter().map(String::from).collect(),
        autonomia,
        modelo: None,
        embutido: true,
        criado_em: 0,
        mcp: vec![],
    }
}

#[test]
fn a_escada_de_autonomia_nunca_pula_o_card() {
    for nivel in [Autonomia::Cauteloso, Autonomia::Padrao, Autonomia::Solto] {
        let papel = papel(nivel, vec![]);
        for f in papeis::ferramentas_do_papel(Some(&papel)) {
            if FERRAMENTAS_QUE_GRAVAM.contains(&f.as_str()) {
                assert!(pede_licenca(&nome_completo(&f)), "{f} escapou do card em {nivel:?}");
            }
        }
        if papeis::nativas(nivel).contains(&"Bash") {
            assert!(!aceita_regra("Bash"));
        }
    }
}

#[test]
fn cauteloso_nao_grava_e_solto_roda_comando() {
    let cauteloso = papeis::ferramentas_do_papel(Some(&papel(Autonomia::Cauteloso, vec![])));
    assert!(!cauteloso.contains(&"escrever_nota".to_string()));
    assert!(cauteloso.contains(&"enviar_para".to_string()), "conversar vale em todo nível");
    assert!(!papeis::nativas(Autonomia::Cauteloso).contains(&"Write"));

    let padrao = papeis::ferramentas_do_papel(Some(&papel(Autonomia::Padrao, vec![])));
    assert!(padrao.contains(&"escrever_nota".to_string()));
    assert!(!papeis::nativas(Autonomia::Padrao).contains(&"Bash"));

    assert!(papeis::nativas(Autonomia::Solto).contains(&"Bash"));
}

#[test]
fn o_papel_estreita_a_lista_da_autonomia_mas_nunca_a_alarga() {
    let esperto = papel(
        Autonomia::Cauteloso,
        vec!["ler_nota".into(), "escrever_nota".into(), "escrever_arquivo".into()],
    );
    let tem = papeis::ferramentas_do_papel(Some(&esperto));
    assert_eq!(tem, vec!["ler_nota".to_string()], "a autonomia foi contornada: {tem:?}");
}

#[test]
fn so_quem_tem_a_ferramenta_monta_time() {
    let organizador = embutido("Organizador");
    let redator = embutido("Redator");
    assert!(papeis::pode_recrutar(Some(&organizador)));
    assert!(!papeis::pode_recrutar(Some(&redator)), "o Redator não monta time");
    assert!(!papeis::pode_recrutar(None));
    assert!(!papeis::ferramentas_do_papel(None).contains(&"recrutar".to_string()));
}

#[test]
fn no_sem_papel_continua_com_o_que_tinha_antes_do_m4() {
    let nativas = papeis::nativas_do_papel(None);
    for f in ["Read", "Glob", "Grep", "Write", "Edit", "NotebookEdit", "Bash"] {
        assert!(nativas.contains(&f), "nó sem papel perdeu {f}");
    }
    let do_seis = papeis::ferramentas_do_papel(None);
    assert!(do_seis.contains(&"escrever_nota".to_string()));
    assert!(do_seis.contains(&"enviar_para".to_string()));
    assert!(!do_seis.contains(&"recrutar".to_string()));
}

#[test]
fn o_time_listado_no_papel_passa_por_qualquer_autonomia() {
    let chefe = papel(Autonomia::Cauteloso, vec!["recrutar".into(), "escrever_nota".into()]);
    assert_eq!(papeis::ferramentas_do_papel(Some(&chefe)), vec!["recrutar".to_string()]);
    assert!(papeis::pode_recrutar(Some(&chefe)));
}

#[test]
fn a_biblioteca_traz_os_cinco_papeis() {
    let nomes: Vec<&str> = papeis::embutidos().iter().map(|e| e.0).collect();
    assert_eq!(nomes, vec!["Pesquisador", "Redator", "Revisor", "Analista", "Organizador"]);
    let pesquisador = embutido("Pesquisador");
    let alcanca = papeis::ferramentas_do_papel(Some(&pesquisador));
    assert!(!alcanca.contains(&"escrever_arquivo".to_string()));
    assert!(alcanca.contains(&"ler_arquivo".to_string()));
}

#[test]
fn nome_de_servidor_externo_nao_pode_virar_curinga() {
    for ruim in [".*", "a|b", "crm-x", "com espaço", ""] {
        let s = vec![ServidorMcp { nome: ruim.into(), url: "http://x".into(), cabecalhos: vec![] }];
        assert!(papeis::checar_servidores(&s).is_err(), "aceitou o nome {ruim:?}");
        assert!(!papeis::nome_de_servidor_valido(ruim));
    }
    let ok = vec![ServidorMcp {
        nome: "crm_interno".into(),
        url: "http://127.0.0.1:9/mcp".into(),
        cabecalhos: vec![("X-Chave".into(), "segredo".into())],
    }];
    assert!(papeis::checar_servidores(&ok).is_ok());
}

#[test]
fn a_chave_do_servidor_externo_nao_atravessa_a_fronteira_ipc() {
    let mut p = papel(Autonomia::Padrao, vec![]);
    p.mcp = vec![ServidorMcp {
        nome: "crm".into(),
        url: "http://127.0.0.1:9/mcp".into(),
        cabecalhos: vec![("Authorization".into(), "Bearer segredo-do-crm".into())],
    }];
    assert_eq!(p.mcp[0].cabecalhos[0].1, "Bearer segredo-do-crm");
    let limpo = p.sem_segredos();
    assert_eq!(limpo.mcp.len(), 1);
    assert_eq!(limpo.mcp[0].nome, "crm", "o nome do servidor tem de aparecer");
    assert!(limpo.mcp[0].cabecalhos.is_empty(), "a chave vazou");
}

#[test]
fn semear_so_traz_os_papeis_que_faltam_e_de_novo_nao_traz_nada() {
    let primeira = papeis::a_semear(&vec![]);
    let nomes: Vec<String> = primeira.iter().map(|e| e.0.to_string()).collect();
    assert_eq!(nomes, vec!["Pesquisador", "Redator", "Revisor", "Analista", "Organizador"]);
    // Semeado uma vez, semear de novo não cria nada.
    assert!(papeis::a_semear(&nomes).is_empty());
    // Quem já existe com o mesmo nome fica; o que falta vem.
    let parcial = papeis::a_semear(&vec!["Redator".to_string(), "Meu papel".to_string()]);
    let faltam: Vec<&str> = parcial.iter().map(|e| e.0).collect();
    assert_eq!(faltam, vec!["Pesquisador", "Revisor", "Analista", "Organizador"]);
}

#[test]
fn a_biblioteca_de_papeis_vem_junto_e_semear_duas_vezes_nao_duplica() {
    let todos = papeis::a_semear(&vec![]);
    assert_eq!(todos.len(), papeis::embutidos().len(), "a biblioteca não sobe inteira");
    let nomes: Vec<String> = todos.iter().map(|e| e.0.to_string()).collect();
    assert_eq!(papeis::a_semear(&nomes).len(), 0, "semeou de novo");
    for (nome, _, _, _) in papeis::embutidos() {
        let p = embutido(nome);
        assert!(p.embutido, "{} não veio marcado", p.nome);
        assert!(p.prompt.len() > 80, "prompt curto demais em {}", p.nome);
    }
}
