use nucleo::db::{
    cabo_repetido, checar_cabo, migracoes_a_aplicar, nome_do_no, nome_do_workspace, nome_renomeado,
    proximo_z, tipo_cabo_lido, tipo_no_lido, VERSAO_DO_ESQUEMA,
};
use nucleo::erro::Erro;
use nucleo::modelo::{TipoCabo, TipoNo};

#[test]
fn workspace_sem_nome_e_recusado() {
    match nome_do_workspace("   ") {
        Err(Erro::Invalido(m)) => assert_eq!(m, "o workspace precisa de um nome"),
        outro => panic!("veio {outro:?}"),
    }
    assert_eq!(nome_do_workspace(" Obra ").unwrap(), "Obra");
    assert!(nome_renomeado("").is_err());
}

#[test]
fn no_sem_nome_ganha_padrao_do_tipo() {
    assert_eq!(nome_do_no("  ", TipoNo::Nota), "Nota");
    assert_eq!(nome_do_no("", TipoNo::Agente), "Agente");
    assert_eq!(nome_do_no(" Chefe ", TipoNo::Agente), "Chefe");
}

#[test]
fn cabo_para_si_mesmo_e_recusado() {
    match checar_cabo("n1", "n1") {
        Err(Erro::Invalido(m)) => assert_eq!(m, "um nó não se conecta a si mesmo"),
        outro => panic!("veio {outro:?}"),
    }
    assert!(checar_cabo("n1", "n2").is_ok());
    assert_eq!(cabo_repetido().mensagem(), "esses nós já estão ligados desse jeito");
}

#[test]
fn banco_mais_novo_que_o_app_e_recusado() {
    assert_eq!(migracoes_a_aplicar(0, VERSAO_DO_ESQUEMA).unwrap(), (0, 1));
    assert_eq!(migracoes_a_aplicar(1, 1).unwrap(), (1, 1));
    match migracoes_a_aplicar(3, 1) {
        Err(Erro::Invalido(m)) => assert_eq!(m, "banco na versão 3, app só conhece até 1. Atualize o Mutirão."),
        outro => panic!("veio {outro:?}"),
    }
}

#[test]
fn trazer_para_frente_passa_de_todos() {
    assert_eq!(proximo_z(None), 1);
    assert_eq!(proximo_z(Some(7)), 8);
}

#[test]
fn lixo_no_banco_nao_derruba_o_app() {
    assert_eq!(tipo_no_lido("nota"), TipoNo::Nota);
    assert_eq!(tipo_no_lido("???"), TipoNo::Forma);
    assert_eq!(tipo_cabo_lido("le_nota"), TipoCabo::LeNota);
    assert_eq!(tipo_cabo_lido("???"), TipoCabo::FalaCom);
}
